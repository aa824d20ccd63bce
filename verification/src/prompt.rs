//! The system prompt, and the prompt of a headless run.

use crate::output::{silence, Report, Reported, Stream};
use crate::text::{
    is_blank, is_white_space, text_of, trim, trimmed, trimmed_has_bare_ends,
    trimmed_is_surrounded_by_white_space, trimming_keeps_the_inside,
};
use vstd::prelude::*;
use vstd::string::*;

verus! {

/// The system prompt: `base` or the `custom` text that replaces it, the system context, the user
/// context, and the text to `append`, each set off by an empty line.
pub open spec fn system_prompt_text(
    base: Seq<char>,
    system_context: Seq<char>,
    user_context: Seq<char>,
    custom: Option<Seq<char>>,
    append: Option<Seq<char>>,
) -> Seq<char> {
    let first = match custom {
        Some(custom) => custom,
        None => base,
    };
    let all = first + "\n\n"@ + system_context + "\n\n"@ + user_context;
    match append {
        Some(append) => all + "\n\n"@ + append,
        None => all,
    }
}

/// Assembles the system prompt.
pub fn system_prompt(
    base: &str,
    system_context: &str,
    user_context: &str,
    custom: &Option<String>,
    append: &Option<String>,
) -> (prompt: String)
    ensures
        prompt@ == system_prompt_text(
            base@,
            system_context@,
            user_context@,
            text_of(*custom),
            text_of(*append),
        ),
{
    let first: String = match custom {
        Some(custom) => custom.clone(),
        None => base.to_string(),
    };
    let all: String = first.concat("\n\n").concat(system_context).concat("\n\n").concat(
        user_context,
    );
    match append {
        Some(append) => all.concat("\n\n").concat(append.as_str()),
        None => all,
    }
}

/// What is printed where only the two contexts are asked for.
pub fn context_dump(system_context: &str, user_context: &str) -> (dump: String)
    ensures
        dump@ == system_context@ + "\n\n"@ + user_context@,
{
    system_context.to_string().concat("\n\n").concat(user_context)
}

/// The prompt of a headless run: the one on the command line as it stands, else what was read
/// from standard input, trimmed.
pub open spec fn headless_prompt_text(argument: Option<Seq<char>>, stdin: Seq<char>) -> Seq<char> {
    match argument {
        Some(prompt) => prompt,
        None => trimmed(stdin),
    }
}

/// The complaint about a missing prompt.
pub open spec fn no_prompt() -> Reported {
    silence().say(
        Stream::Stderr,
        "Error: No prompt provided. Use --print <prompt> or pipe text to stdin."@,
    ).then_exit(1)
}

/// Finds the prompt of a headless run; an empty one is refused. `stdin` is only looked at where
/// there is no `argument`.
pub fn headless_prompt(argument: Option<String>, stdin: &str) -> (prompt: Result<String, Report>)
    ensures
        ({
            let text = headless_prompt_text(text_of(argument), stdin@);
            match prompt {
                Ok(prompt) => text.len() > 0 && prompt@ == text,
                Err(report) => text.len() == 0 && report@ == no_prompt(),
            }
        }),
{
    let prompt: String = match argument {
        Some(prompt) => prompt,
        None => trim(stdin),
    };
    if prompt.as_str().is_empty() {
        let text: String =
            "Error: No prompt provided. Use --print <prompt> or pipe text to stdin.".to_string();
        return Err(Report::new().say(Stream::Stderr, text).then_exit(1));
    }
    Ok(prompt)
}

/// A custom system prompt replaces the built-in text altogether, and only that: the contexts
/// stay.
pub proof fn custom_prompt_replaces_base(
    one: Seq<char>,
    other: Seq<char>,
    system_context: Seq<char>,
    user_context: Seq<char>,
    custom: Seq<char>,
    append: Option<Seq<char>>,
)
    ensures
        system_prompt_text(one, system_context, user_context, Some(custom), append)
            == system_prompt_text(other, system_context, user_context, Some(custom), append),
        system_prompt_text(one, system_context, user_context, Some(custom), append)
            == system_prompt_text(custom, system_context, user_context, None, append),
{
}

/// Appended text comes last, after all that the prompt holds without it.
pub proof fn appended_text_comes_last(
    base: Seq<char>,
    system_context: Seq<char>,
    user_context: Seq<char>,
    custom: Option<Seq<char>>,
    append: Seq<char>,
)
    ensures
        system_prompt_text(base, system_context, user_context, custom, Some(append))
            == system_prompt_text(base, system_context, user_context, custom, None) + "\n\n"@
            + append,
{
}

/// Every part of the system prompt stands in it whole and in its place: the base, the system
/// context and the user context, with one empty line between two of them and nothing else.
pub proof fn prompt_parts_stand_whole(
    base: Seq<char>,
    system_context: Seq<char>,
    user_context: Seq<char>,
)
    ensures
        ({
            let prompt = system_prompt_text(base, system_context, user_context, None, None);
            let second: int = base.len() as int + 2;
            let third: int = second + system_context.len() + 2;
            &&& prompt.len() == third + user_context.len()
            &&& prompt.subrange(0, base.len() as int) == base
            &&& prompt.subrange(base.len() as int, second) == seq!['\n', '\n']
            &&& prompt.subrange(second, second + system_context.len()) == system_context
            &&& prompt.subrange(second + system_context.len(), third) == seq!['\n', '\n']
            &&& prompt.subrange(third, prompt.len() as int) == user_context
        }),
{
    reveal_strlit("\n\n");
    let prompt = system_prompt_text(base, system_context, user_context, None, None);
    let second: int = base.len() as int + 2;
    let third: int = second + system_context.len() + 2;
    assert(prompt.subrange(0, base.len() as int) =~= base);
    assert(prompt.subrange(base.len() as int, second) =~= seq!['\n', '\n']);
    assert(prompt.subrange(second, second + system_context.len()) =~= system_context);
    assert(prompt.subrange(second + system_context.len(), third) =~= seq!['\n', '\n']);
    assert(prompt.subrange(third, prompt.len() as int) =~= user_context);
}

/// A prompt on the command line is taken character for character, whatever standard input holds.
pub proof fn argument_prompts_stand_as_given(argument: Seq<char>, stdin: Seq<char>)
    ensures
        headless_prompt_text(Some(argument), stdin) == argument,
{
}

/// Without a prompt on the command line, the prompt is all of standard input but the white space
/// around it: what stands between two runs of white space, and neither begins nor ends with any,
/// is the prompt, whole, with every line that it has.
pub proof fn piped_prompts_are_kept_whole(before: Seq<char>, inside: Seq<char>, after: Seq<char>)
    requires
        is_blank(before),
        is_blank(after),
        inside.len() > 0 ==> !is_white_space(inside[0]) && !is_white_space(
            inside[inside.len() - 1],
        ),
    ensures
        headless_prompt_text(None, before + inside + after) == inside,
{
    trimming_keeps_the_inside(before, inside, after);
}

/// Whatever is piped in, the prompt is one piece of it, with nothing but white space before and
/// after it, and neither begins nor ends with white space.
pub proof fn piped_prompts_are_part_of_the_input(stdin: Seq<char>) -> (around: (
    Seq<char>,
    Seq<char>,
))
    ensures
        stdin == around.0 + headless_prompt_text(None, stdin) + around.1,
        is_blank(around.0),
        is_blank(around.1),
        ({
            let prompt = headless_prompt_text(None, stdin);
            prompt.len() > 0 ==> !is_white_space(prompt[0]) && !is_white_space(
                prompt[prompt.len() - 1],
            )
        }),
{
    trimmed_has_bare_ends(stdin);
    trimmed_is_surrounded_by_white_space(stdin)
}

/// A missing prompt is told in one line on standard error, and the program exits with 1.
pub proof fn missing_prompts_are_told()
    ensures
        no_prompt().output.len() == 1,
        no_prompt().output[0].stream is Stderr,
        no_prompt().output[0].text
            == "Error: No prompt provided. Use --print <prompt> or pipe text to stdin."@ + "\n"@,
        no_prompt().exit == Some(1i32),
{
}

} // verus!
