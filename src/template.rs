use vstd::prelude::*;

use crate::connector::StepError;

verus! {

#[verifier::external_type_specification]
#[verifier::external_body]
pub struct ExTemplateError(minijinja::Error);

/// What `text` becomes when every match of the regular expression `pattern`
/// is replaced by `replacement` (with `$1` standing for the first group);
/// `None` where the pattern is not a valid expression.
pub uninterp spec fn regex_replaced(
    pattern: Seq<char>,
    text: Seq<char>,
    replacement: Seq<char>,
) -> Option<Seq<char>>;

/// What the template engine renders `source` to, with the name `scope` bound
/// to the mapping given by `vars`; `None` where it refuses the template.
pub uninterp spec fn rendered(
    source: Seq<char>,
    scope: Seq<char>,
    vars: Seq<(String, String)>,
) -> Option<Seq<char>>;

/// Relies on regex::Regex::new and regex::Regex::replace_all: compiling the
/// pattern fails or succeeds by the pattern alone, and the replaced text
/// depends on the pattern, the text and the replacement alone.
#[verifier::external_body]
fn replace_all(pattern: &str, text: &str, replacement: &str) -> (r: Option<String>)
    ensures
        match r {
            Some(s) => regex_replaced(pattern@, text@, replacement@) == Some(s@),
            None => regex_replaced(pattern@, text@, replacement@) is None,
        },
{
    match regex::Regex::new(pattern) {
        Ok(re) => Some(re.replace_all(text, replacement).into_owned()),
        Err(_) => None,
    }
}

/// Relies on minijinja::Environment::render_str, on a fresh environment: the
/// result depends on the source, the name and the variables alone.
#[verifier::external_body]
fn render(source: &str, scope: &str, vars: &Vec<(String, String)>) -> (r: Result<
    String,
    minijinja::Error,
>)
    ensures
        match r {
            Ok(s) => rendered(source@, scope@, vars@) == Some(s@),
            Err(_) => rendered(source@, scope@, vars@) is None,
        },
{
    let map: std::collections::BTreeMap<String, String> = vars.iter().cloned().collect();
    let mut ctx = std::collections::BTreeMap::new();
    ctx.insert(scope, map);
    minijinja::Environment::new().render_str(source, ctx)
}

/// The placeholder syntax of configuration files, `${{ expr }}`.
pub open spec fn placeholder_pattern() -> Seq<char> {
    "\\$\\{\\{(.*)\\}\\}"@
}

/// The name under which templates see the variables.
pub open spec fn variables_scope() -> Seq<char> {
    "env"@
}

/// The template syntax a placeholder is rewritten to, `{{ expr }}`.
pub open spec fn template_form() -> Seq<char> {
    "{{$1}}"@
}

/// Resolves the placeholders of a configuration text: each `${{ expr }}` is
/// rewritten to `{{ expr }}` and the text is then rendered as a template with
/// `env` bound to `vars`. A text the template engine refuses is a
/// configuration error.
pub fn resolve_config_text(text: &String, vars: &Vec<(String, String)>) -> (r: Result<
    String,
    StepError,
>)
    ensures
        match regex_replaced(placeholder_pattern(), text@, template_form()) {
            Some(t) => match rendered(t, variables_scope(), vars@) {
                Some(s) => r matches Ok(out) && out@ == s,
                None => r == Err::<String, StepError>(StepError::ConfigError),
            },
            None => r == Err::<String, StepError>(StepError::ConfigError),
        },
{
    proof {
        reveal_strlit("\\$\\{\\{(.*)\\}\\}");
        reveal_strlit("{{$1}}");
        reveal_strlit("env");
    }
    match replace_all("\\$\\{\\{(.*)\\}\\}", text.as_str(), "{{$1}}") {
        Some(t) => match render(t.as_str(), "env", vars) {
            Ok(s) => Ok(s),
            Err(_) => Err(StepError::ConfigError),
        },
        None => Err(StepError::ConfigError),
    }
}

} // verus!
