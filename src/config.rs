//! Configuration layers and the merge that yields the effective configuration.
//!
//! Every field of a layer is optional, so that "not configured" (inherit from
//! the default layer) stays distinct from "configured as empty or false"
//! (which overrides the default layer).
use crate::path::{file_stem, join_path, joined, json_file_name};
use crate::platform::Os;
use vstd::prelude::*;

verus! {

/// One parsed configuration file.
#[derive(Clone, Debug)]
pub struct ConfigLayer {
    /// Class path entries, relative to the executable's directory.
    pub class_path: Option<Vec<String>>,
    /// Dotted name of the class whose `main` method is invoked.
    pub main_class: Option<String>,
    /// Options handed to the virtual machine verbatim.
    pub vm_args: Option<Vec<String>>,
    /// Program arguments placed before those of the command line.
    pub args: Option<Vec<String>>,
    pub use_zgc_if_supported_os: Option<bool>,
    pub use_main_as_context_class_loader: Option<bool>,
    pub run_on_first_thread: Option<bool>,
}

pub struct LayerView {
    pub class_path: Option<Seq<Seq<char>>>,
    pub main_class: Option<Seq<char>>,
    pub vm_args: Option<Seq<Seq<char>>>,
    pub args: Option<Seq<Seq<char>>>,
    pub use_zgc_if_supported_os: Option<bool>,
    pub use_main_as_context_class_loader: Option<bool>,
    pub run_on_first_thread: Option<bool>,
}

impl View for ConfigLayer {
    type V = LayerView;

    open spec fn view(&self) -> LayerView {
        LayerView {
            class_path: self.class_path.deep_view(),
            main_class: self.main_class.deep_view(),
            vm_args: self.vm_args.deep_view(),
            args: self.args.deep_view(),
            use_zgc_if_supported_os: self.use_zgc_if_supported_os,
            use_main_as_context_class_loader: self.use_main_as_context_class_loader,
            run_on_first_thread: self.run_on_first_thread,
        }
    }
}

/// The configuration a launch runs with, after merging and defaulting.
#[derive(Clone, Debug)]
pub struct Config {
    pub class_path: Vec<String>,
    pub main_class: String,
    pub vm_args: Vec<String>,
    pub args: Vec<String>,
    pub use_zgc_if_supported_os: bool,
    pub use_main_as_context_class_loader: bool,
    pub run_on_first_thread: bool,
}

pub struct ConfigView {
    pub class_path: Seq<Seq<char>>,
    pub main_class: Seq<char>,
    pub vm_args: Seq<Seq<char>>,
    pub args: Seq<Seq<char>>,
    pub use_zgc_if_supported_os: bool,
    pub use_main_as_context_class_loader: bool,
    pub run_on_first_thread: bool,
}

impl View for Config {
    type V = ConfigView;

    open spec fn view(&self) -> ConfigView {
        ConfigView {
            class_path: self.class_path.deep_view(),
            main_class: self.main_class@,
            vm_args: self.vm_args.deep_view(),
            args: self.args.deep_view(),
            use_zgc_if_supported_os: self.use_zgc_if_supported_os,
            use_main_as_context_class_loader: self.use_main_as_context_class_loader,
            run_on_first_thread: self.run_on_first_thread,
        }
    }
}

/// Why no effective configuration could be formed.
#[derive(Clone, Copy, Debug, PartialEq, Eq, Structural)]
pub enum ConfigError {
    /// The default configuration file could not be read or parsed.
    DefaultUnavailable,
    /// Neither layer sets `classPath`.
    MissingClassPath,
    /// Neither layer sets `mainClass`.
    MissingMainClass,
}

/// A value set in the override layer wins; otherwise the default layer's.
pub open spec fn present_wins<T>(over: Option<T>, base: Option<T>) -> Option<T> {
    if over is Some {
        over
    } else {
        base
    }
}

pub open spec fn merged(base: LayerView, over: LayerView) -> LayerView {
    LayerView {
        class_path: present_wins(over.class_path, base.class_path),
        main_class: present_wins(over.main_class, base.main_class),
        vm_args: present_wins(over.vm_args, base.vm_args),
        args: present_wins(over.args, base.args),
        use_zgc_if_supported_os: present_wins(
            over.use_zgc_if_supported_os,
            base.use_zgc_if_supported_os,
        ),
        use_main_as_context_class_loader: present_wins(
            over.use_main_as_context_class_loader,
            base.use_main_as_context_class_loader,
        ),
        run_on_first_thread: present_wins(over.run_on_first_thread, base.run_on_first_thread),
    }
}

/// The effective configuration of a merged layer: both mandatory fields must
/// be set; optional sequences default to empty and flags to false.
pub open spec fn effective(l: LayerView) -> Result<ConfigView, ConfigError> {
    if l.class_path is None {
        Err(ConfigError::MissingClassPath)
    } else if l.main_class is None {
        Err(ConfigError::MissingMainClass)
    } else {
        Ok(
            ConfigView {
                class_path: l.class_path->0,
                main_class: l.main_class->0,
                vm_args: l.vm_args.unwrap_or(seq![]),
                args: l.args.unwrap_or(seq![]),
                use_zgc_if_supported_os: l.use_zgc_if_supported_os.unwrap_or(false),
                use_main_as_context_class_loader: l.use_main_as_context_class_loader.unwrap_or(
                    false,
                ),
                run_on_first_thread: l.run_on_first_thread.unwrap_or(false),
            },
        )
    }
}

/// What resolving a default layer (absent when unreadable) and an optional
/// override layer yields.
pub open spec fn resolved(
    base: Option<LayerView>,
    over: Option<LayerView>,
) -> Result<ConfigView, ConfigError> {
    match base {
        None => Err(ConfigError::DefaultUnavailable),
        Some(b) => match over {
            None => effective(b),
            Some(o) => effective(merged(b, o)),
        },
    }
}

pub open spec fn layer_view(l: Option<ConfigLayer>) -> Option<LayerView> {
    match l {
        Some(x) => Some(x@),
        None => None,
    }
}

pub open spec fn config_result_view(r: Result<Config, ConfigError>) -> Result<
    ConfigView,
    ConfigError,
> {
    match r {
        Ok(c) => Ok(c@),
        Err(e) => Err(e),
    }
}

fn pick<T>(over: Option<T>, base: Option<T>) -> (r: Option<T>)
    ensures
        r == present_wins(over, base),
{
    match over {
        Some(v) => Some(v),
        None => base,
    }
}

impl ConfigLayer {
    /// A layer that sets nothing.
    pub fn empty() -> (r: ConfigLayer)
        ensures
            r@ == (LayerView {
                class_path: None,
                main_class: None,
                vm_args: None,
                args: None,
                use_zgc_if_supported_os: None,
                use_main_as_context_class_loader: None,
                run_on_first_thread: None,
            }),
    {
        ConfigLayer {
            class_path: None,
            main_class: None,
            vm_args: None,
            args: None,
            use_zgc_if_supported_os: None,
            use_main_as_context_class_loader: None,
            run_on_first_thread: None,
        }
    }

    /// Lays `over` on top of `self`, field by field.
    pub fn merge(self, over: ConfigLayer) -> (r: ConfigLayer)
        ensures
            r@ == merged(self@, over@),
    {
        ConfigLayer {
            class_path: pick(over.class_path, self.class_path),
            main_class: pick(over.main_class, self.main_class),
            vm_args: pick(over.vm_args, self.vm_args),
            args: pick(over.args, self.args),
            use_zgc_if_supported_os: pick(over.use_zgc_if_supported_os, self.use_zgc_if_supported_os),
            use_main_as_context_class_loader: pick(
                over.use_main_as_context_class_loader,
                self.use_main_as_context_class_loader,
            ),
            run_on_first_thread: pick(over.run_on_first_thread, self.run_on_first_thread),
        }
    }

    /// The effective configuration of this layer alone.
    pub fn into_config(self) -> (r: Result<Config, ConfigError>)
        ensures
            config_result_view(r) == effective(self@),
    {
        let class_path = match self.class_path {
            Some(v) => v,
            None => {
                return Err(ConfigError::MissingClassPath);
            },
        };
        let main_class = match self.main_class {
            Some(m) => m,
            None => {
                return Err(ConfigError::MissingMainClass);
            },
        };
        let vm_args = match self.vm_args {
            Some(v) => v,
            None => Vec::new(),
        };
        let args = match self.args {
            Some(v) => v,
            None => Vec::new(),
        };
        let c = Config {
            class_path,
            main_class,
            vm_args,
            args,
            use_zgc_if_supported_os: match self.use_zgc_if_supported_os {
                Some(b) => b,
                None => false,
            },
            use_main_as_context_class_loader: match self.use_main_as_context_class_loader {
                Some(b) => b,
                None => false,
            },
            run_on_first_thread: match self.run_on_first_thread {
                Some(b) => b,
                None => false,
            },
        };
        assert(c@.vm_args =~= self@.vm_args.unwrap_or(seq![]));
        assert(c@.args =~= self@.args.unwrap_or(seq![]));
        Ok(c)
    }
}

/// Resolves the default layer (`None` when its file could not be read or
/// parsed) and the optional override layer (`None` when absent or malformed)
/// into the effective configuration.
pub fn resolve(base: Option<ConfigLayer>, over: Option<ConfigLayer>) -> (r: Result<
    Config,
    ConfigError,
>)
    ensures
        config_result_view(r) == resolved(layer_view(base), layer_view(over)),
{
    match base {
        None => Err(ConfigError::DefaultUnavailable),
        Some(b) => match over {
            None => b.into_config(),
            Some(o) => b.merge(o).into_config(),
        },
    }
}

/// Merging is per field: a field that the override layer sets is taken from
/// it, even when it is set to an empty list or to false; a field it leaves
/// unset is taken from the default layer.
pub proof fn lemma_present_field_wins(base: LayerView, over: LayerView)
    ensures
        over.class_path is Some ==> merged(base, over).class_path == over.class_path,
        over.class_path is None ==> merged(base, over).class_path == base.class_path,
        over.main_class is Some ==> merged(base, over).main_class == over.main_class,
        over.main_class is None ==> merged(base, over).main_class == base.main_class,
        over.vm_args is Some ==> merged(base, over).vm_args == over.vm_args,
        over.vm_args is None ==> merged(base, over).vm_args == base.vm_args,
        over.args is Some ==> merged(base, over).args == over.args,
        over.args is None ==> merged(base, over).args == base.args,
        over.use_zgc_if_supported_os is Some ==> merged(base, over).use_zgc_if_supported_os
            == over.use_zgc_if_supported_os,
        over.use_zgc_if_supported_os is None ==> merged(base, over).use_zgc_if_supported_os
            == base.use_zgc_if_supported_os,
        over.use_main_as_context_class_loader is Some ==> merged(
            base,
            over,
        ).use_main_as_context_class_loader == over.use_main_as_context_class_loader,
        over.use_main_as_context_class_loader is None ==> merged(
            base,
            over,
        ).use_main_as_context_class_loader == base.use_main_as_context_class_loader,
        over.run_on_first_thread is Some ==> merged(base, over).run_on_first_thread
            == over.run_on_first_thread,
        over.run_on_first_thread is None ==> merged(base, over).run_on_first_thread
            == base.run_on_first_thread,
{
}

/// Without `mainClass` in either layer there is no effective configuration,
/// hence no plan and no runtime: resolution fails, with `MissingMainClass`
/// whenever some layer sets the class path.
pub proof fn lemma_missing_main_class_fails(base: LayerView, over: Option<LayerView>)
    requires
        base.main_class is None,
        over matches Some(o) ==> o.main_class is None,
    ensures
        resolved(Some(base), over) is Err,
        (base.class_path is Some || (over matches Some(o) && o.class_path is Some)) ==> resolved(
            Some(base),
            over,
        ) == Err::<ConfigView, ConfigError>(ConfigError::MissingMainClass),
{
}

/// The default configuration: `<exe_dir>/app/<executable stem>.json`.
pub open spec fn default_config_location(os: Os, exe_dir: Seq<char>, exe_name: Seq<char>) -> Seq<
    char,
> {
    joined(os, joined(os, exe_dir, "app"@), file_stem(exe_name) + ".json"@)
}

/// The override configuration: `<exe_dir>/<executable stem>.json`.
pub open spec fn override_config_location(os: Os, exe_dir: Seq<char>, exe_name: Seq<char>) -> Seq<
    char,
> {
    joined(os, exe_dir, file_stem(exe_name) + ".json"@)
}

/// Where the default configuration of the executable `exe_name`, lying in
/// `exe_dir`, is read from.
pub fn default_config_path(os: Os, exe_dir: &str, exe_name: &str) -> (r: String)
    ensures
        r@ == default_config_location(os, exe_dir@, exe_name@),
{
    let folder = join_path(os, exe_dir, "app");
    let file = json_file_name(exe_name);
    join_path(os, folder.as_str(), file.as_str())
}

/// Where the optional override configuration is read from.
pub fn override_config_path(os: Os, exe_dir: &str, exe_name: &str) -> (r: String)
    ensures
        r@ == override_config_location(os, exe_dir@, exe_name@),
{
    let file = json_file_name(exe_name);
    join_path(os, exe_dir, file.as_str())
}

} // verus!
