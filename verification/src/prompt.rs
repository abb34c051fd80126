//! The instruction sent to the chat model: a fixed template with one place
//! for the caller's description of the notebook.

use vstd::prelude::*;
use crate::text::occurs_at;

verus! {

/// The template's words before the description.
pub const PROMPT_PREFIX: &'static str =
    "You have been integrated into a software application as an advanced large language model (LLM). Your primary function is to autonomously generate content for a Jupyter Notebook using the widely accepted Pandoc Markdown syntax (include Python code). You will produce high-quality, structured Markdown content adhering to the specific conventions and standards of the Pandoc format, facilitating seamless integration into Jupyter Notebooks. The description of the notebooks is ";

/// The template's words after the description.
pub const PROMPT_SUFFIX: &'static str = ".";

/// The prompt for a notebook described by `description`.
pub open spec fn prompt_for(description: Seq<char>) -> Seq<char> {
    PROMPT_PREFIX@ + description + PROMPT_SUFFIX@
}

/// Builds the prompt for `description`, which is taken as it is: nothing in
/// it is checked, escaped or trimmed.
pub fn build_prompt(description: &str) -> (prompt: String)
    ensures
        prompt@ == prompt_for(description@),
{
    let mut prompt = String::from_str(PROMPT_PREFIX);
    prompt.append(description);
    prompt.append(PROMPT_SUFFIX);
    prompt
}

/// The prompt is the template with the description put once into its one
/// open place: the template's words stand before and after it unchanged, and
/// nothing else is added.
pub proof fn lemma_prompt_embeds_description(description: Seq<char>)
    ensures
        occurs_at(prompt_for(description), description, PROMPT_PREFIX@.len() as int),
        prompt_for(description).len() == PROMPT_PREFIX@.len() + description.len()
            + PROMPT_SUFFIX@.len(),
        prompt_for(description).take(PROMPT_PREFIX@.len() as int) == PROMPT_PREFIX@,
        prompt_for(description).skip((PROMPT_PREFIX@.len() + description.len()) as int)
            == PROMPT_SUFFIX@,
{
    let prompt = prompt_for(description);
    let start = PROMPT_PREFIX@.len() as int;
    assert(prompt.subrange(start, start + description.len()) =~= description);
}

/// Different descriptions give different prompts.
pub proof fn lemma_prompt_determines_description(first: Seq<char>, second: Seq<char>)
    requires
        prompt_for(first) == prompt_for(second),
    ensures
        first == second,
{
    lemma_prompt_embeds_description(first);
    lemma_prompt_embeds_description(second);
}

} // verus!
