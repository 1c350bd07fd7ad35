//! Lifecycle hooks: commands with templated arguments and streams, turned
//! into concrete commands against a context and run one after another.

use crate::errors::Error;
use crate::template::{
    context_view, has_partials, render_error_text, render_template, rendered, uses_partials,
};
use vstd::string::*;
use vstd::prelude::*;

verus! {

/// An externally configured command. Its arguments, its destinations for
/// standard output and standard error, and its standard input are templates.
#[derive(Clone, Debug, PartialEq, Eq)]
pub struct Hook {
    pub name: String,
    pub cmd: String,
    pub args: Option<Vec<String>>,
    pub stdin: Option<String>,
    pub stdout: Option<String>,
    pub stderr: Option<String>,
}

/// A hook with every template rendered: what is to be launched.
#[derive(Clone, Debug, PartialEq, Eq)]
pub struct HookCommand {
    /// The executable.
    pub cmd: String,
    /// The arguments, in order.
    pub args: Vec<String>,
    /// The file that receives standard output; discarded where `None`.
    pub stdout: Option<String>,
    /// The file that receives standard error; discarded where `None`.
    pub stderr: Option<String>,
    /// The text to write to a standard-input pipe once the process runs;
    /// where `None`, standard input is closed.
    pub stdin: Option<String>,
}

/// What to do next in a run over a list of hooks.
#[derive(Debug, PartialEq, Eq)]
pub enum HookRun {
    /// Launch this command, for the hook at `index`, and wait for it.
    Launch { index: usize, command: HookCommand },
    /// The run is over, with this result.
    Finished(Result<(), Error>),
}

/// What a template gives against a context: the text that the engine
/// renders, or `None` where the template does not render or may call or
/// define a partial.
pub open spec fn template_text(template: Seq<char>, context: Seq<(Seq<char>, Seq<char>)>) -> Option<
    Seq<char>,
> {
    if uses_partials(template) {
        None
    } else {
        rendered(template, context)
    }
}

/// The message of the failure that answers a template with a partial.
pub open spec fn partial_message() -> Seq<char> {
    "partials are not supported in a hook's templates"@
}

/// Whether an optional template renders; an absent one does.
pub open spec fn optional_renders(template: Option<String>, context: Seq<(Seq<char>, Seq<char>)>) -> bool {
    template matches Some(t) ==> template_text(t@, context) is Some
}

/// Whether `text` is what an optional template renders to: absent where
/// the template is.
pub open spec fn optional_is_rendered(
    text: Option<String>,
    template: Option<String>,
    context: Seq<(Seq<char>, Seq<char>)>,
) -> bool {
    match template {
        Some(t) => text matches Some(s) && template_text(t@, context) == Some(s@),
        None => text is None,
    }
}

/// Whether each of `templates` renders.
pub open spec fn all_render(templates: Seq<String>, context: Seq<(Seq<char>, Seq<char>)>) -> bool {
    forall|i: int|
        0 <= i < templates.len() ==> template_text(#[trigger] templates[i]@, context) is Some
}

/// Whether `texts` holds, in order, what each of `templates` renders to.
pub open spec fn are_rendered(
    texts: Seq<String>,
    templates: Seq<String>,
    context: Seq<(Seq<char>, Seq<char>)>,
) -> bool {
    &&& texts.len() == templates.len()
    &&& forall|i: int|
        0 <= i < templates.len() ==> template_text(templates[i]@, context) == Some(
            #[trigger] texts[i]@,
        )
}

impl Hook {
    /// The argument templates; none where the hook configures no list.
    pub open spec fn arg_templates(self) -> Seq<String> {
        match self.args {
            Some(list) => list@,
            None => Seq::empty(),
        }
    }

    /// Whether every template of the hook renders against `context`.
    pub open spec fn renders(self, context: Seq<(Seq<char>, Seq<char>)>) -> bool {
        &&& all_render(self.arg_templates(), context)
        &&& optional_renders(self.stdout, context)
        &&& optional_renders(self.stderr, context)
        &&& optional_renders(self.stdin, context)
    }

    /// Whether `command` is this hook rendered against `context`.
    pub open spec fn yields(self, command: HookCommand, context: Seq<(Seq<char>, Seq<char>)>) -> bool {
        &&& command.cmd@ == self.cmd@
        &&& are_rendered(command.args@, self.arg_templates(), context)
        &&& optional_is_rendered(command.stdout, self.stdout, context)
        &&& optional_is_rendered(command.stderr, self.stderr, context)
        &&& optional_is_rendered(command.stdin, self.stdin, context)
    }
}

/// The result of a rendering whose outcome is the rendered text or the
/// engine's message: the text as it is, or a template error with exactly
/// that message.
pub fn template_outcome(outcome: Result<String, String>) -> (r: Result<String, Error>)
    ensures
        r == match outcome {
            Ok(text) => Ok::<String, Error>(text),
            Err(message) => Err(Error::Template(message)),
        },
{
    match outcome {
        Ok(text) => Ok(text),
        Err(message) => Err(Error::Template(message)),
    }
}

/// The result of rendering an optional template that is present, from the
/// result of rendering it: the text, now present, or the same error.
pub fn present_outcome(outcome: Result<String, Error>) -> (r: Result<Option<String>, Error>)
    ensures
        r == match outcome {
            Ok(text) => Ok::<Option<String>, Error>(Some(text)),
            Err(e) => Err(e),
        },
{
    match outcome {
        Ok(text) => Ok(Some(text)),
        Err(e) => Err(e),
    }
}

/// The result of rendering a list of templates so far, taken one template
/// further: a failure before stays as it is; else the next text is added at
/// the end, or the next failure becomes the result.
pub fn extend_outcome(so_far: Result<Vec<String>, Error>, next: Result<String, Error>) -> (r: Result<
    Vec<String>,
    Error,
>)
    ensures
        match so_far {
            Err(e) => r == Err::<Vec<String>, Error>(e),
            Ok(texts) => match next {
                Ok(text) => r matches Ok(longer) && longer@ == texts@.push(text),
                Err(e) => r == Err::<Vec<String>, Error>(e),
            },
        },
{
    match so_far {
        Err(e) => Err(e),
        Ok(texts) => match next {
            Ok(text) => {
                let mut longer = texts;
                longer.push(text);
                Ok(longer)
            },
            Err(e) => Err(e),
        },
    }
}

/// The command of a hook from the results of rendering its parts: the
/// command where every part rendered; else the first failure, in the order
/// arguments, standard output, standard error, standard input.
pub fn command_outcome(
    cmd: String,
    args: Result<Vec<String>, Error>,
    stdout: Result<Option<String>, Error>,
    stderr: Result<Option<String>, Error>,
    stdin: Result<Option<String>, Error>,
) -> (r: Result<HookCommand, Error>)
    ensures
        r == match (args, stdout, stderr, stdin) {
            (Err(e), _, _, _) => Err::<HookCommand, Error>(e),
            (Ok(_), Err(e), _, _) => Err(e),
            (Ok(_), Ok(_), Err(e), _) => Err(e),
            (Ok(_), Ok(_), Ok(_), Err(e)) => Err(e),
            (Ok(args), Ok(stdout), Ok(stderr), Ok(stdin)) => Ok(
                HookCommand { cmd, args, stdout, stderr, stdin },
            ),
        },
{
    match args {
        Err(e) => Err(e),
        Ok(args) => match stdout {
            Err(e) => Err(e),
            Ok(stdout) => match stderr {
                Err(e) => Err(e),
                Ok(stderr) => match stdin {
                    Err(e) => Err(e),
                    Ok(stdin) => Ok(HookCommand { cmd, args, stdout, stderr, stdin }),
                },
            },
        },
    }
}

/// The step of a run that follows the rendering of the hook at `index`:
/// to launch the command, or to end the run with exactly the failure that
/// the rendering gave.
pub fn run_outcome(index: usize, outcome: Result<HookCommand, Error>) -> (r: HookRun)
    ensures
        r == match outcome {
            Ok(command) => HookRun::Launch { index, command },
            Err(e) => HookRun::Finished(Err(e)),
        },
{
    match outcome {
        Ok(command) => HookRun::Launch { index, command },
        Err(e) => HookRun::Finished(Err(e)),
    }
}

/// Renders one template. A template that may call or define a partial is
/// answered with a template error and never reaches the engine; the
/// engine's failure comes back as a template error with the engine's
/// message.
pub fn render(template: &str, context: &Vec<(String, String)>) -> (r: Result<String, Error>)
    ensures
        match r {
            Ok(text) => template_text(template@, context_view(context@)) == Some(text@),
            Err(e) => template_text(template@, context_view(context@)) is None && e is Template,
        },
        uses_partials(template@) ==> (r matches Err(e) && e.spec_message() == partial_message()),
{
    if has_partials(template) {
        return Err(
            Error::Template(String::from_str("partials are not supported in a hook's templates")),
        );
    }
    let outcome = match render_template(template, context) {
        Ok(text) => Ok(text),
        Err(e) => Err(render_error_text(&e)),
    };
    template_outcome(outcome)
}

/// Renders an optional template; an absent one stays absent.
pub fn render_optional(template: &Option<String>, context: &Vec<(String, String)>) -> (r: Result<
    Option<String>,
    Error,
>)
    ensures
        r is Ok <==> optional_renders(*template, context_view(context@)),
        r matches Ok(text) ==> optional_is_rendered(text, *template, context_view(context@)),
        r matches Err(e) ==> e is Template,
{
    match template {
        Some(t) => present_outcome(render(t.as_str(), context)),
        None => Ok(None),
    }
}

/// Renders a list of templates in order, and stops at the first that fails.
pub fn render_all(templates: &Vec<String>, context: &Vec<(String, String)>) -> (r: Result<
    Vec<String>,
    Error,
>)
    ensures
        r is Ok <==> all_render(templates@, context_view(context@)),
        r matches Ok(texts) ==> are_rendered(texts@, templates@, context_view(context@)),
        r matches Err(e) ==> e is Template,
{
    let mut result: Result<Vec<String>, Error> = Ok(Vec::new());
    let mut i: usize = 0;
    while i < templates.len() && result.is_ok()
        invariant
            i <= templates.len(),
            result matches Ok(texts) ==> texts@.len() == i && forall|j: int|
                0 <= j < i ==> template_text(templates@[j]@, context_view(context@)) == Some(
                    #[trigger] texts@[j]@,
                ),
            result matches Err(e) ==> e is Template && !all_render(
                templates@,
                context_view(context@),
            ),
        decreases templates.len() - i,
    {
        let next = render(templates[i].as_str(), context);
        proof {
            if next is Err {
                assert(template_text(templates@[i as int]@, context_view(context@)) is None);
            }
        }
        result = extend_outcome(result, next);
        i += 1;
    }
    proof {
        if result is Ok {
            let texts = result->Ok_0;
            assert forall|j: int| 0 <= j < templates@.len() implies template_text(
                #[trigger] templates@[j]@,
                context_view(context@),
            ) is Some by {
                assert(template_text(templates@[j]@, context_view(context@)) == Some(texts@[j]@));
            }
        }
    }
    result
}

/// Turns a hook into the command to launch: the executable as configured,
/// and each argument, each stream destination and the standard input
/// rendered against `context`. Fails, with a template error, exactly where
/// one of the hook's templates does not render. What the launched process
/// exits with is no failure of the hook.
pub fn call(context: &Vec<(String, String)>, hook: &Hook) -> (r: Result<HookCommand, Error>)
    ensures
        r is Ok <==> hook.renders(context_view(context@)),
        r matches Ok(command) ==> hook.yields(command, context_view(context@)),
        r matches Err(e) ==> e is Template,
{
    let args = match &hook.args {
        Some(list) => render_all(list, context),
        None => Ok(Vec::new()),
    };
    let stdout = render_optional(&hook.stdout, context);
    let stderr = render_optional(&hook.stderr, context);
    let stdin = render_optional(&hook.stdin, context);
    command_outcome(hook.cmd.clone(), args, stdout, stderr, stdin)
}

/// One step of a run over `hooks`, in order. `next` is the position of the
/// hook to launch now, 0 at first; `last` is the outcome of the hook
/// launched before it, `Ok` at first.
///
/// A failure of the hook before ends the run with that failure, and no
/// later hook is launched. So does a hook whose templates do not render.
/// Past the last hook the run ends well. Hooks that ran are not undone.
pub fn call_multiple(
    context: &Vec<(String, String)>,
    hooks: &[Hook],
    next: usize,
    last: Result<(), Error>,
) -> (r: HookRun)
    ensures
        match last {
            Err(e) => r == HookRun::Finished(Err(e)),
            Ok(_) => if next >= hooks@.len() {
                r == HookRun::Finished(Ok(()))
            } else if hooks@[next as int].renders(context_view(context@)) {
                r matches HookRun::Launch { index, command } && index == next && hooks@[next as int].yields(
                    command,
                    context_view(context@),
                )
            } else {
                r matches HookRun::Finished(Err(e)) && e is Template
            },
        },
{
    match last {
        Err(e) => HookRun::Finished(Err(e)),
        Ok(_) => {
            if next >= hooks.len() {
                HookRun::Finished(Ok(()))
            } else {
                run_outcome(next, call(context, &hooks[next]))
            }
        },
    }
}

} // verus!
