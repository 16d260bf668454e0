//! What the configuration command asks and shows.

use crate::config::Config;
use crate::text;
use crate::text::{join, string_views};
use vstd::prelude::*;

verus! {

/// The models that can be chosen, in the order in which they are offered.
pub const SONNET: &'static str = "sonnet";

pub const HAIKU: &'static str = "haiku";

/// What stands for an author who is not set.
pub const NOT_SET: &'static str = "(not set)";

/// The place of a model among those offered: the second for `haiku`, the first for every
/// other.
pub fn model_index(model: &str) -> (r: usize)
    ensures
        r == (if model@ == HAIKU@ {
            1int
        } else {
            0int
        }),
{
    let m = text::chars_of(model);
    if text::same_str(&m, HAIKU) {
        1
    } else {
        0
    }
}

/// The model at a place among those offered.
pub fn model_at(selection: usize) -> (r: String)
    ensures
        r@ == (if selection == 1 {
            HAIKU@
        } else {
            SONNET@
        }),
{
    if selection == 1 {
        String::from_str(HAIKU)
    } else {
        String::from_str(SONNET)
    }
}

/// The author that an answer names: none for an empty answer.
pub fn author_of(answer: String) -> (r: Option<String>)
    ensures
        answer@.len() == 0 ==> r is None,
        answer@.len() > 0 ==> r == Some(answer),
{
    if answer.as_str().unicode_len() == 0 {
        None
    } else {
        Some(answer)
    }
}

/// The author as it is shown.
pub open spec fn shown_author(author: Option<String>) -> Seq<char> {
    match author {
        Some(a) => a@,
        None => NOT_SET@,
    }
}

/// The author as it is shown.
pub fn author_display(config: &Config) -> (r: String)
    ensures
        r@ == shown_author(config.archive.author),
{
    match &config.archive.author {
        Some(a) => a.clone(),
        None => String::from_str(NOT_SET),
    }
}

/// The tags as they are shown: joined by a comma and a space.
pub fn tags_display(config: &Config) -> (r: String)
    ensures
        r@ == join(string_views(config.archive.tags@), ", "@),
{
    let ghost tags = string_views(config.archive.tags@);
    let mut out: Vec<char> = Vec::new();
    let mut i: usize = 0;
    assert(tags.subrange(0, 0) =~= Seq::<Seq<char>>::empty());
    while i < config.archive.tags.len()
        invariant
            i <= config.archive.tags.len(),
            tags == string_views(config.archive.tags@),
            out@ == join(tags.subrange(0, i as int), ", "@),
        decreases config.archive.tags.len() - i,
    {
        proof {
            let next = tags.subrange(0, i + 1);
            assert(next.drop_last() =~= tags.subrange(0, i as int));
            assert(next.last() == config.archive.tags@[i as int]@);
        }
        if i > 0 {
            text::push_str(&mut out, ", ");
        }
        text::push_str(&mut out, config.archive.tags[i].as_str());
        i += 1;
    }
    assert(tags.subrange(0, config.archive.tags.len() as int) =~= tags);
    text::string_of(&out)
}

/// Sets the storage directory.
pub fn set_storage(config: &mut Config, path: &str)
    ensures
        final(config).storage.path@ == path@,
        final(config).archive == old(config).archive,
        final(config).summarization == old(config).summarization,
        final(config).hooks == old(config).hooks,
        final(config).output == old(config).output,
        final(config).prompt_templates == old(config).prompt_templates,
{
    config.storage.path = String::from_str(path);
}

} // verus!
