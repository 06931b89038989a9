use vstd::prelude::*;
use vstd::string::{StrSliceExecFns, StringExecFns};

verus! {

/// `name` appended to the directory `dir`: with a `/` between them unless
/// `dir` is empty or already ends in one.
pub open spec fn join_spec(dir: Seq<char>, name: Seq<char>) -> Seq<char> {
    if dir.len() == 0 {
        name
    } else if dir.last() == '/' {
        dir + name
    } else {
        dir + seq!['/'] + name
    }
}

/// `name` appended to the directory `dir`.
pub fn join_path(dir: &str, name: &str) -> (r: String)
    ensures
        r@ == join_spec(dir@, name@),
{
    let n = dir.unicode_len();
    if n == 0 {
        String::from_str(name)
    } else if dir.get_char(n - 1) == '/' {
        let mut r = String::from_str(dir);
        r.append(name);
        r
    } else {
        let mut r = String::from_str(dir);
        r.append("/");
        proof {
            reveal_strlit("/");
        }
        r.append(name);
        assert(r@ =~= dir@ + seq!['/'] + name@);
        r
    }
}

/// The variables document used when none is named: `variables.toml` beside
/// the template, in the template's directory `template_dir`.
pub fn default_variables_path(template_dir: &str) -> (r: String)
    ensures
        r@ == join_spec(template_dir@, "variables.toml"@),
{
    join_path(template_dir, "variables.toml")
}

/// The output file used when none is named:
/// `<config_dir>/zed/themes/<template_stem>.json`.
pub fn default_output_path(config_dir: &str, template_stem: &str) -> (r: String)
    ensures
        r@ == join_spec(join_spec(config_dir@, "zed/themes/"@), template_stem@ + ".json"@),
{
    let themes = join_path(config_dir, "zed/themes/");
    let mut file = String::from_str(template_stem);
    file.append(".json");
    join_path(themes.as_str(), file.as_str())
}

/// The variables document to use: the one named, or else the default beside
/// the template.
pub fn resolve_variables_path(template_dir: &str, variables: Option<String>) -> (r: String)
    ensures
        match variables {
            Some(v) => r == v,
            None => r@ == join_spec(template_dir@, "variables.toml"@),
        },
{
    match variables {
        Some(v) => v,
        None => default_variables_path(template_dir),
    }
}

/// The output file to write: the one named, or else the default under the
/// configuration directory.
pub fn resolve_output_path(config_dir: &str, template_stem: &str, output: Option<String>) -> (r: String)
    ensures
        match output {
            Some(o) => r == o,
            None => r@ == join_spec(
                join_spec(config_dir@, "zed/themes/"@),
                template_stem@ + ".json"@,
            ),
        },
{
    match output {
        Some(o) => o,
        None => default_output_path(config_dir, template_stem),
    }
}

/// Why the tool cannot start.
#[derive(Debug, Clone, Copy, PartialEq, Eq, Structural)]
pub enum StartupError {
    /// The template is not an existing file.
    MissingTemplate,
    /// No variables document was named and the default one does not exist.
    MissingDefaultVariables,
    /// The variables document that was named does not exist.
    MissingVariables,
}

impl StartupError {
    /// The process exit code for this error.
    pub fn exit_code(&self) -> (r: i32)
        ensures
            r == 1,
    {
        1
    }
}

/// Whether the tool can start, given whether the template is a file,
/// whether a variables document was named, and whether the variables
/// document in use is a file. The template is checked first.
pub fn check_startup(template_is_file: bool, variables_named: bool, variables_is_file: bool) -> (r: Result<(), StartupError>)
    ensures
        r is Ok <==> template_is_file && variables_is_file,
        !template_is_file ==> r == Err::<(), StartupError>(StartupError::MissingTemplate),
        template_is_file && !variables_is_file && !variables_named ==> r == Err::<(), StartupError>(
            StartupError::MissingDefaultVariables,
        ),
        template_is_file && !variables_is_file && variables_named ==> r == Err::<(), StartupError>(
            StartupError::MissingVariables,
        ),
{
    if !template_is_file {
        Err(StartupError::MissingTemplate)
    } else if !variables_is_file {
        if variables_named {
            Err(StartupError::MissingVariables)
        } else {
            Err(StartupError::MissingDefaultVariables)
        }
    } else {
        Ok(())
    }
}

} // verus!
