//! Templates with `{{variable}}` placeholders.

use crate::text;
use crate::text::replace;
use vstd::prelude::*;

verus! {

/// The placeholder of a variable: its name in double braces.
pub open spec fn placeholder(name: Seq<char>) -> Seq<char> {
    "{{"@ + name + "}}"@
}

/// The template with the placeholders of the first `upto` variables replaced by their
/// values, one variable after the other.
pub open spec fn rendered(template: Seq<char>, variables: Seq<(String, String)>, upto: int) -> Seq<
    char,
>
    decreases upto,
{
    if upto <= 0 || upto > variables.len() {
        template
    } else {
        replace(
            rendered(template, variables, upto - 1),
            placeholder(variables[upto - 1].0@),
            variables[upto - 1].1@,
        )
    }
}

/// Reads a variable name from position `from` on, after the opening braces: the
/// characters up to the closing double brace, without any single closing brace among
/// them, and the position after the double brace. Nothing where the text ends first.
pub open spec fn scanned_name(s: Seq<char>, from: int, name: Seq<char>) -> Option<(Seq<char>, int)>
    decreases s.len() - from,
{
    if from < 0 || from >= s.len() {
        None
    } else if s[from] == '}' {
        if from + 1 < s.len() && s[from + 1] == '}' {
            Some((name, from + 2))
        } else {
            scanned_name(s, from + 1, name)
        }
    } else {
        scanned_name(s, from + 1, name.push(s[from]))
    }
}

/// `found` with the name added, unless the name is empty or among them already.
pub open spec fn with_name(found: Seq<Seq<char>>, name: Seq<char>) -> Seq<Seq<char>> {
    if name.len() > 0 && !found.contains(name) {
        found.push(name)
    } else {
        found
    }
}

/// The names of the variables of a template from position `from` on, added to those
/// found before: each name once, in the order of its first placeholder.
pub open spec fn variables_from(s: Seq<char>, from: int, found: Seq<Seq<char>>) -> Seq<Seq<char>>
    decreases s.len() - from,
{
    if from < 0 || from >= s.len() {
        found
    } else if s[from] == '{' && from + 1 < s.len() && s[from + 1] == '{' {
        match scanned_name(s, from + 2, Seq::empty()) {
            Some((name, next)) => if from < next <= s.len() {
                variables_from(s, next, with_name(found, name))
            } else {
                found
            },
            None => found,
        }
    } else {
        variables_from(s, from + 1, found)
    }
}

/// The names of the variables of a template.
pub open spec fn variables_of(template: Seq<char>) -> Seq<Seq<char>> {
    variables_from(template, 0, Seq::empty())
}

/// The engine that fills prompt templates.
pub struct TemplateEngine;

impl TemplateEngine {
    /// The template with each `{{name}}` replaced by the value of the variable of that
    /// name. The variables are applied in the order given; a placeholder without a
    /// variable stays as it is.
    pub fn render(template: &str, variables: &Vec<(String, String)>) -> (r: String)
        ensures
            r@ == rendered(template@, variables@, variables@.len() as int),
    {
        let mut result = text::chars_of(template);
        let mut i: usize = 0;
        while i < variables.len()
            invariant
                i <= variables.len(),
                result@ == rendered(template@, variables@, i as int),
            decreases variables.len() - i,
        {
            let mut pattern: Vec<char> = Vec::new();
            text::push_str(&mut pattern, "{{");
            text::push_str(&mut pattern, variables[i].0.as_str());
            text::push_str(&mut pattern, "}}");
            let value = text::chars_of(variables[i].1.as_str());
            result = text::replaced(&result, &pattern, &value);
            i += 1;
        }
        text::string_of(&result)
    }

    /// Reads a variable name from position `from` on.
    fn scan_name(s: &Vec<char>, from: usize) -> (r: Option<(Vec<char>, usize)>)
        requires
            from <= s.len(),
        ensures
            r is Some <==> scanned_name(s@, from as int, Seq::empty()) is Some,
            r matches Some(v) ==> scanned_name(s@, from as int, Seq::empty()) == Some(
                (v.0@, v.1 as int),
            ) && from < v.1 <= s.len(),
    {
        let mut name: Vec<char> = Vec::new();
        let mut i: usize = from;
        while i < s.len()
            invariant
                from <= i <= s.len(),
                scanned_name(s@, from as int, Seq::empty()) == scanned_name(s@, i as int, name@),
            decreases s.len() - i,
        {
            if s[i] == '}' {
                if i + 1 < s.len() && s[i + 1] == '}' {
                    return Some((name, i + 2));
                }
            } else {
                name.push(s[i]);
            }
            i += 1;
        }
        None
    }

    /// The names of the variables that a template uses, each once, in the order of its
    /// first placeholder.
    pub fn extract_variables(template: &str) -> (r: Vec<String>)
        ensures
            text::string_views(r@) == variables_of(template@),
    {
        let s = text::chars_of(template);
        let mut found: Vec<String> = Vec::new();
        let mut i: usize = 0;
        assert(text::string_views(found@) =~= Seq::<Seq<char>>::empty());
        while i < s.len()
            invariant
                i <= s.len(),
                s@ == template@,
                variables_of(template@) == variables_from(
                    s@,
                    i as int,
                    text::string_views(found@),
                ),
            decreases s.len() - i,
        {
            if s[i] == '{' && i + 1 < s.len() && s[i + 1] == '{' {
                match Self::scan_name(&s, i + 2) {
                    Some((name, next)) => {
                        let ghost prior = text::string_views(found@);
                        let name = text::string_of(&name);
                        if name.as_str().unicode_len() > 0 && !crate::transcript::parser::holds_string(
                            &found,
                            name.as_str(),
                        ) {
                            found.push(name);
                            assert(text::string_views(found@) =~= prior.push(name@));
                        }
                        i = next;
                    },
                    None => {
                        return found;
                    },
                }
            } else {
                i += 1;
            }
        }
        found
    }
}

} // verus!
