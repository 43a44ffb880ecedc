//! The launch plan: everything the virtual machine is started with, resolved
//! to absolute paths and final option and argument lists.
use crate::config::{Config, ConfigView};
use crate::path::{join_path, joined};
use crate::platform::{
    class_path_delimiter, delimiter, is_zgc_supported, library_folder, library_search_variable,
    runtime_library_folder, search_path_variable, zgc_supported, Os, OsVersion,
};
use vstd::prelude::*;

verus! {

/// `<exe_dir>/runtime/<lib or bin>/server`.
pub open spec fn runtime_dir_of(os: Os, exe_dir: Seq<char>) -> Seq<char> {
    joined(os, joined(os, joined(os, exe_dir, "runtime"@), runtime_library_folder(os)), "server"@)
}

/// Each class path entry resolved against the executable's directory, in order.
pub open spec fn resolved_entries(os: Os, exe_dir: Seq<char>, entries: Seq<Seq<char>>) -> Seq<
    Seq<char>,
> {
    Seq::new(entries.len(), |i: int| joined(os, exe_dir, entries[i]))
}

/// The entries written one after another with `d` between neighbours.
pub open spec fn delimited(entries: Seq<Seq<char>>, d: char) -> Seq<char>
    decreases entries.len(),
{
    if entries.len() == 0 {
        seq![]
    } else if entries.len() == 1 {
        entries[0]
    } else {
        delimited(entries.drop_last(), d) + seq![d] + entries.last()
    }
}

pub open spec fn class_path_option(class_path: Seq<char>) -> Seq<char> {
    "-Djava.class.path="@ + class_path
}

/// The two options that switch the virtual machine to the Z garbage collector.
pub open spec fn zgc_options() -> Seq<Seq<char>> {
    seq!["-XX:+UnlockExperimentalVMOptions"@, "-XX:+UseZGC"@]
}

/// The class path option first, then the configured options verbatim, then
/// the collector options when they are asked for and supported.
pub open spec fn option_list(class_path: Seq<char>, vm_args: Seq<Seq<char>>, zgc: bool) -> Seq<
    Seq<char>,
> {
    seq![class_path_option(class_path)] + vm_args + if zgc {
        zgc_options()
    } else {
        seq![]
    }
}

/// A dotted class name in the slash-separated form the runtime looks up.
pub open spec fn internal_name(name: Seq<char>) -> Seq<char> {
    Seq::new(name.len(), |i: int| if name[i] == '.' { '/' } else { name[i] })
}

/// A string the runtime can receive: it holds no NUL character.
pub open spec fn representable(s: Seq<char>) -> bool {
    forall|i: int| 0 <= i < s.len() ==> s[i] != '\0'
}

pub open spec fn all_representable(args: Seq<Seq<char>>) -> bool {
    forall|i: int| 0 <= i < args.len() ==> representable(#[trigger] args[i])
}

pub open spec fn is_first_unrepresentable(args: Seq<Seq<char>>, k: int) -> bool {
    &&& 0 <= k < args.len()
    &&& !representable(args[k])
    &&& forall|j: int| 0 <= j < k ==> representable(#[trigger] args[j])
}

/// The search path with the runtime directory placed before any earlier value.
/// Windows looks for dependent libraries along `PATH`, so there the same rule
/// applies to `PATH`.
pub open spec fn augmented_search_path(os: Os, existing: Option<Seq<char>>, dir: Seq<char>) -> Seq<
    char,
> {
    match existing {
        Some(e) => if e.len() == 0 {
            dir
        } else {
            dir + seq![delimiter(os)] + e
        },
        None => dir,
    }
}

/// The file name of the virtual machine's shared library on one of the
/// supported systems.
pub open spec fn is_jvm_library_name(n: Seq<char>) -> bool {
    n == "jvm.dll"@ || n == "libjvm.dylib"@ || n == "libjvm.so"@
}

/// Relies on `java_locator::get_jvm_dyn_lib_file_name`, which returns
/// `jvm.dll`, `libjvm.dylib` or `libjvm.so` by the system the crate is built for.
#[verifier::external_body]
fn jvm_library_file_name() -> (r: &'static str)
    ensures
        is_jvm_library_name(r@),
{
    java_locator::get_jvm_dyn_lib_file_name()
}

/// The resolved plan for one launch.
#[derive(Clone, Debug)]
pub struct LaunchPlan {
    /// Absolute directory holding the runtime's shared library.
    pub runtime_dir: String,
    /// Absolute class path entries joined by the platform's delimiter.
    pub class_path: String,
    /// Options the virtual machine is created with.
    pub options: Vec<String>,
    /// Internal (slash-separated) name of the entry class.
    pub main_class: String,
    /// Arguments handed to the entry point.
    pub args: Vec<String>,
    pub use_main_as_context_class_loader: bool,
    pub run_on_first_thread: bool,
}

pub struct PlanView {
    pub runtime_dir: Seq<char>,
    pub class_path: Seq<char>,
    pub options: Seq<Seq<char>>,
    pub main_class: Seq<char>,
    pub args: Seq<Seq<char>>,
    pub use_main_as_context_class_loader: bool,
    pub run_on_first_thread: bool,
}

impl View for LaunchPlan {
    type V = PlanView;

    open spec fn view(&self) -> PlanView {
        PlanView {
            runtime_dir: self.runtime_dir@,
            class_path: self.class_path@,
            options: self.options.deep_view(),
            main_class: self.main_class@,
            args: self.args.deep_view(),
            use_main_as_context_class_loader: self.use_main_as_context_class_loader,
            run_on_first_thread: self.run_on_first_thread,
        }
    }
}

/// The plan for configuration `c`, an executable in `exe_dir` and the
/// command-line arguments `cli`.
pub open spec fn plan_of(
    os: Os,
    version: OsVersion,
    exe_dir: Seq<char>,
    c: ConfigView,
    cli: Seq<Seq<char>>,
) -> PlanView {
    let cp = delimited(resolved_entries(os, exe_dir, c.class_path), delimiter(os));
    PlanView {
        runtime_dir: runtime_dir_of(os, exe_dir),
        class_path: cp,
        options: option_list(cp, c.vm_args, c.use_zgc_if_supported_os && zgc_supported(os, version)),
        main_class: internal_name(c.main_class),
        args: c.args + cli,
        use_main_as_context_class_loader: c.use_main_as_context_class_loader,
        run_on_first_thread: c.run_on_first_thread,
    }
}

/// The class path keeps the configured order: entry `i` of the resolved list
/// is entry `i` of the configuration resolved against the executable's
/// directory, and the plan's class path is these entries joined in that order.
pub proof fn lemma_class_path_in_order(
    os: Os,
    version: OsVersion,
    exe_dir: Seq<char>,
    c: ConfigView,
    cli: Seq<Seq<char>>,
)
    ensures
        resolved_entries(os, exe_dir, c.class_path).len() == c.class_path.len(),
        forall|i: int|
            0 <= i < c.class_path.len() ==> #[trigger] resolved_entries(os, exe_dir, c.class_path)[i]
                == joined(os, exe_dir, c.class_path[i]),
        plan_of(os, version, exe_dir, c, cli).class_path == delimited(
            resolved_entries(os, exe_dir, c.class_path),
            delimiter(os),
        ),
        c.class_path.len() == 2 ==> plan_of(os, version, exe_dir, c, cli).class_path == joined(
            os,
            exe_dir,
            c.class_path[0],
        ) + seq![delimiter(os)] + joined(os, exe_dir, c.class_path[1]),
{
    let r = resolved_entries(os, exe_dir, c.class_path);
    if c.class_path.len() == 2 {
        assert(r.drop_last().len() == 1);
        assert(r.drop_last()[0] == r[0]);
        assert(delimited(r.drop_last(), delimiter(os)) == r[0]);
        assert(delimited(r, delimiter(os)) == r[0] + seq![delimiter(os)] + r[1]);
    }
}

/// The entry point receives the configured arguments first, in order, then
/// the command-line arguments, in order.
pub proof fn lemma_config_arguments_first(
    os: Os,
    version: OsVersion,
    exe_dir: Seq<char>,
    c: ConfigView,
    cli: Seq<Seq<char>>,
)
    ensures
        plan_of(os, version, exe_dir, c, cli).args.len() == c.args.len() + cli.len(),
        forall|i: int|
            0 <= i < c.args.len() ==> #[trigger] plan_of(os, version, exe_dir, c, cli).args[i]
                == c.args[i],
        forall|i: int|
            0 <= i < cli.len() ==> #[trigger] plan_of(os, version, exe_dir, c, cli).args[c.args.len()
                + i] == cli[i],
{
}

/// The collector options close the option list exactly when the
/// configuration asks for them and the system supports the collector;
/// otherwise the list ends with the configured options.
pub proof fn lemma_zgc_options_iff(
    os: Os,
    version: OsVersion,
    exe_dir: Seq<char>,
    c: ConfigView,
    cli: Seq<Seq<char>>,
)
    ensures
        ({
            let o = plan_of(os, version, exe_dir, c, cli).options;
            let n = c.vm_args.len() as int + 1;
            let on = c.use_zgc_if_supported_os && zgc_supported(os, version);
            &&& o.subrange(0, n) == seq![o[0]] + c.vm_args
            &&& on ==> o.len() == n + 2 && o.subrange(n, n + 2) == zgc_options()
            &&& !on ==> o.len() == n
        }),
{
    let o = plan_of(os, version, exe_dir, c, cli).options;
    let n = c.vm_args.len() as int + 1;
    assert(o.subrange(0, n) =~= seq![o[0]] + c.vm_args);
    if c.use_zgc_if_supported_os && zgc_supported(os, version) {
        assert(o.subrange(n, n + 2) =~= zgc_options());
    }
}

/// Why a plan could not be formed.
#[derive(Clone, Copy, Debug, PartialEq, Eq, Structural)]
pub enum PlanError {
    /// The argument at this index holds a NUL character.
    UnrepresentableArgument(usize),
}

pub fn runtime_dir(os: Os, exe_dir: &str) -> (r: String)
    ensures
        r@ == runtime_dir_of(os, exe_dir@),
{
    let a = join_path(os, exe_dir, "runtime");
    let b = join_path(os, a.as_str(), library_folder(os));
    join_path(os, b.as_str(), "server")
}

/// Where the virtual machine's shared library lies in `runtime_dir`.
pub fn runtime_library_path(os: Os, runtime_dir: &str) -> (r: String)
    ensures
        exists|n: Seq<char>| is_jvm_library_name(n) && r@ == joined(os, runtime_dir@, n),
{
    let name = jvm_library_file_name();
    join_path(os, runtime_dir, name)
}

pub fn resolve_class_path(os: Os, exe_dir: &str, entries: &Vec<String>) -> (r: Vec<String>)
    ensures
        r.deep_view() == resolved_entries(os, exe_dir@, entries.deep_view()),
{
    let mut r: Vec<String> = Vec::new();
    let mut i: usize = 0;
    while i < entries.len()
        invariant
            i <= entries.len(),
            r@.len() == i,
            forall|k: int|
                0 <= k < i ==> #[trigger] r@[k]@ == joined(os, exe_dir@, entries@[k]@),
        decreases entries.len() - i,
    {
        let e = join_path(os, exe_dir, entries[i].as_str());
        r.push(e);
        i = i + 1;
    }
    assert(r.deep_view() =~= resolved_entries(os, exe_dir@, entries.deep_view()));
    r
}

pub fn join_class_path(os: Os, entries: &Vec<String>) -> (r: String)
    ensures
        r@ == delimited(entries.deep_view(), delimiter(os)),
{
    let ghost d = delimiter(os);
    let mut r = String::new();
    let mut i: usize = 0;
    while i < entries.len()
        invariant
            i <= entries.len(),
            r@ == delimited(entries.deep_view().subrange(0, i as int), d),
            d == delimiter(os),
        decreases entries.len() - i,
    {
        let ghost prev = entries.deep_view().subrange(0, i as int);
        if i > 0 {
            r.append(class_path_delimiter(os));
        }
        r.append(entries[i].as_str());
        i = i + 1;
        proof {
            let cur = entries.deep_view().subrange(0, i as int);
            assert(cur.drop_last() =~= prev);
            if i == 1 {
                assert(r@ =~= cur[0]);
            }
        }
    }
    assert(entries.deep_view().subrange(0, i as int) =~= entries.deep_view());
    r
}

pub fn build_vm_options(class_path: &str, vm_args: &Vec<String>, zgc: bool) -> (r: Vec<String>)
    ensures
        r.deep_view() == option_list(class_path@, vm_args.deep_view(), zgc),
{
    let mut first = String::from_str("-Djava.class.path=");
    first.append(class_path);
    let mut r: Vec<String> = Vec::new();
    r.push(first);
    let mut i: usize = 0;
    while i < vm_args.len()
        invariant
            i <= vm_args.len(),
            r@.len() == i + 1,
            r@[0]@ == class_path_option(class_path@),
            forall|k: int| 0 <= k < i ==> #[trigger] r@[k + 1]@ == vm_args@[k]@,
        decreases vm_args.len() - i,
    {
        r.push(vm_args[i].clone());
        i = i + 1;
    }
    if zgc {
        r.push(String::from_str("-XX:+UnlockExperimentalVMOptions"));
        r.push(String::from_str("-XX:+UseZGC"));
    }
    let ghost want = option_list(class_path@, vm_args.deep_view(), zgc);
    assert(r.deep_view().len() == want.len());
    assert forall|k: int| 0 <= k < want.len() implies r.deep_view()[k] == want[k] by {
        if 1 <= k <= i {
            assert(r@[(k - 1) + 1]@ == vm_args@[k - 1]@);
        }
    }
    assert(r.deep_view() =~= want);
    r
}

pub fn internal_class_name(name: &str) -> (r: String)
    ensures
        r@ == internal_name(name@),
{
    let n = name.unicode_len();
    let mut r = String::new();
    let mut i: usize = 0;
    while i < n
        invariant
            i <= n,
            n == name@.len(),
            r@ =~= internal_name(name@.subrange(0, i as int)),
        decreases n - i,
    {
        if name.get_char(i) == '.' {
            r.append("/");
        } else {
            r.append(name.substring_char(i, i + 1));
        }
        proof {
            reveal_strlit("/");
        }
        i = i + 1;
        assert(r@ =~= internal_name(name@.subrange(0, i as int)));
    }
    assert(name@.subrange(0, n as int) =~= name@);
    r
}

/// The configured arguments followed by those of the command line.
pub fn concat_arguments(config_args: &Vec<String>, cli_args: &Vec<String>) -> (r: Vec<String>)
    ensures
        r.deep_view() == config_args.deep_view() + cli_args.deep_view(),
{
    let mut r: Vec<String> = Vec::new();
    let mut i: usize = 0;
    while i < config_args.len()
        invariant
            i <= config_args.len(),
            r@.len() == i,
            forall|k: int| 0 <= k < i ==> #[trigger] r@[k]@ == config_args@[k]@,
        decreases config_args.len() - i,
    {
        r.push(config_args[i].clone());
        i = i + 1;
    }
    let n = i;
    let mut j: usize = 0;
    while j < cli_args.len()
        invariant
            n == config_args.len(),
            j <= cli_args.len(),
            r@.len() == n + j,
            forall|k: int| 0 <= k < n ==> #[trigger] r@[k]@ == config_args@[k]@,
            forall|k: int| 0 <= k < j ==> #[trigger] r@[n + k]@ == cli_args@[k]@,
        decreases cli_args.len() - j,
    {
        r.push(cli_args[j].clone());
        j = j + 1;
    }
    let ghost want = config_args.deep_view() + cli_args.deep_view();
    assert forall|k: int| 0 <= k < want.len() implies r.deep_view()[k] == want[k] by {
        if k >= n {
            assert(r@[n + (k - n)]@ == cli_args@[k - n]@);
        }
    }
    assert(r.deep_view() =~= want);
    r
}

pub fn is_representable(s: &str) -> (r: bool)
    ensures
        r == representable(s@),
{
    let n = s.unicode_len();
    let mut i: usize = 0;
    while i < n
        invariant
            i <= n,
            n == s@.len(),
            forall|j: int| 0 <= j < i ==> s@[j] != '\0',
        decreases n - i,
    {
        if s.get_char(i) == '\0' {
            return false;
        }
        i = i + 1;
    }
    true
}

/// The index of the first argument the runtime cannot receive, if any.
pub fn first_unrepresentable(args: &Vec<String>) -> (r: Option<usize>)
    ensures
        r is None <==> all_representable(args.deep_view()),
        r matches Some(k) ==> is_first_unrepresentable(args.deep_view(), k as int),
{
    let mut i: usize = 0;
    while i < args.len()
        invariant
            i <= args.len(),
            forall|j: int| 0 <= j < i ==> representable(#[trigger] args.deep_view()[j]),
        decreases args.len() - i,
    {
        if !is_representable(args[i].as_str()) {
            assert(!representable(args.deep_view()[i as int]));
            return Some(i);
        }
        i = i + 1;
    }
    None
}

/// The search path variable's new value.
pub fn search_path_value(os: Os, existing: Option<String>, runtime_dir: &str) -> (r: String)
    ensures
        r@ == augmented_search_path(os, existing.deep_view(), runtime_dir@),
{
    let mut r = String::from_str(runtime_dir);
    match existing {
        Some(e) => {
            if e.as_str().unicode_len() > 0 {
                r.append(class_path_delimiter(os));
                r.append(e.as_str());
            }
        },
        None => {},
    }
    r
}

/// The environment variables to set before the runtime starts, in order:
/// the runtime home, then the library search path with the runtime
/// directory in front of its earlier value.
pub fn environment_updates(os: Os, runtime_dir: &str, existing_search_path: Option<String>) -> (r:
    Vec<(String, String)>)
    ensures
        r.deep_view() == seq![
            ("JAVA_HOME"@, runtime_dir@),
            (
                search_path_variable(os),
                augmented_search_path(os, existing_search_path.deep_view(), runtime_dir@),
            ),
        ],
{
    let mut r: Vec<(String, String)> = Vec::new();
    r.push((String::from_str("JAVA_HOME"), String::from_str(runtime_dir)));
    let value = search_path_value(os, existing_search_path, runtime_dir);
    r.push((String::from_str(library_search_variable(os)), value));
    assert(r.deep_view() =~= seq![
        ("JAVA_HOME"@, runtime_dir@),
        (
            search_path_variable(os),
            augmented_search_path(os, existing_search_path.deep_view(), runtime_dir@),
        ),
    ]);
    r
}

/// Builds the launch plan, or reports the first argument the runtime cannot
/// receive.
pub fn build_plan(
    os: Os,
    version: &OsVersion,
    exe_dir: &str,
    config: &Config,
    cli_args: &Vec<String>,
) -> (r: Result<LaunchPlan, PlanError>)
    ensures
        r is Ok <==> all_representable(config@.args + cli_args.deep_view()),
        r matches Ok(p) ==> p@ == plan_of(os, *version, exe_dir@, config@, cli_args.deep_view()),
        r matches Err(PlanError::UnrepresentableArgument(k)) ==> is_first_unrepresentable(
            config@.args + cli_args.deep_view(),
            k as int,
        ),
{
    let args = concat_arguments(&config.args, cli_args);
    match first_unrepresentable(&args) {
        Some(k) => {
            return Err(PlanError::UnrepresentableArgument(k));
        },
        None => {},
    }
    let entries = resolve_class_path(os, exe_dir, &config.class_path);
    let class_path = join_class_path(os, &entries);
    let zgc = config.use_zgc_if_supported_os && is_zgc_supported(os, version);
    let options = build_vm_options(class_path.as_str(), &config.vm_args, zgc);
    let plan = LaunchPlan {
        runtime_dir: runtime_dir(os, exe_dir),
        class_path,
        options,
        main_class: internal_class_name(config.main_class.as_str()),
        args,
        use_main_as_context_class_loader: config.use_main_as_context_class_loader,
        run_on_first_thread: config.run_on_first_thread,
    };
    Ok(plan)
}

} // verus!
