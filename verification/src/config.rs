//! Resolution of the backend's configuration path and launch arguments.

use vstd::prelude::*;
use vstd::string::StringExecFns;

verus! {

/// The fixed location of the backend's configuration file inside the
/// resource directory, as a path suffix with a leading separator.
pub open spec fn config_rel_path() -> Seq<char> {
    "/resources/config.develop.yaml"@
}

/// The logical name under which the backend executable is resolved.
pub open spec fn backend_program() -> Seq<char> {
    "go-sea"@
}

/// The configuration path derived from an optional resource directory: the
/// empty string is the sentinel for "no configuration available".
pub open spec fn config_path_of(resource_dir: Option<Seq<char>>) -> Seq<char> {
    match resource_dir {
        Option::None => Seq::<char>::empty(),
        Option::Some(d) => d + config_rel_path(),
    }
}

/// The argument list the backend is launched with: none for the empty
/// sentinel path, otherwise exactly `-config` followed by the path.
pub open spec fn launch_args_of(config_path: Seq<char>) -> Seq<Seq<char>> {
    if config_path.len() == 0 {
        Seq::<Seq<char>>::empty()
    } else {
        seq!["-config"@, config_path]
    }
}

/// The resolved command to run: the backend's logical program name and its
/// argument list.
pub struct LaunchSpec {
    pub program: String,
    pub args: Vec<String>,
}

/// Joins the resource directory with the fixed configuration suffix; an
/// absent directory yields the empty sentinel path.  Never fails.
pub fn resolve_config_path(resource_dir: Option<&str>) -> (path: String)
    ensures
        path@ == config_path_of(resource_dir.deep_view()),
{
    match resource_dir {
        Option::None => String::new(),
        Option::Some(d) => String::from_str(d).concat("/resources/config.develop.yaml"),
    }
}

/// Builds the command the backend is launched with: no arguments for the
/// empty sentinel path, otherwise `-config` and the path, in that order.
pub fn build_launch_spec(config_path: &str) -> (launch: LaunchSpec)
    ensures
        launch.program@ == backend_program(),
        launch.args.deep_view() == launch_args_of(config_path@),
{
    let program = String::from_str("go-sea");
    let mut args: Vec<String> = Vec::new();
    if !config_path.is_empty() {
        args.push(String::from_str("-config"));
        args.push(String::from_str(config_path));
    }
    proof {
        assert(args.deep_view() =~= launch_args_of(config_path@));
    }
    LaunchSpec { program, args }
}

} // verus!
