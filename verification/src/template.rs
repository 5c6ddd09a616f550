//! The template engine: `${NAME}` placeholders and the `{}` placeholder.
//!
//! A template is read once from left to right. Where `${` opens a
//! placeholder that the next `}` closes, and the text between them is a
//! known variable, the placeholder gives way to the variable's value, which
//! is not read again. Everything else is copied as it stands. A name ends at
//! the first `}`, so a variable whose name holds one is never met.

use crate::string_map::StringMap;
use crate::text::{
    find_char, find_char_from, lemma_find_char_unique, occurs_at_exec, slice_to_string,
    starts_with, to_chars,
};
use vstd::prelude::*;
use vstd::string::StringExecFns;

verus! {

/// The variables of one URL source, by name.
pub type TemplateVars = StringMap;

/// Name of the variable that holds the host name.
pub const HOST_TEMPLATE_VAR: &'static str = "HOST";

/// Name of the variable that holds the URL.
pub const URL_TEMPLATE_VAR: &'static str = "URL";

/// Name of the variable that holds the URL without its protocol prefix.
pub const URL_WITHOUT_PROTOCOL_TEMPLATE_VAR: &'static str = "URL_WITHOUT_PROTOCOL";

/// The secure protocol prefix that `strip_protocol` removes.
pub const HTTPS_PREFIX: &'static str = "https://";

/// The plain protocol prefix that `strip_protocol` removes.
pub const HTTP_PREFIX: &'static str = "http://";

/// Where the placeholder that opens at `at` closes: the position of the
/// first `}` behind `${`. `None` where no `${` stands at `at`, or no `}`
/// follows it.
pub open spec fn placeholder_close(template: Seq<char>, at: int) -> Option<int> {
    if 0 <= at && at + 1 < template.len() && template[at] == '$' && template[at + 1] == '{' {
        let close = find_char(template, '}', at + 2);
        if at + 2 <= close < template.len() {
            Some(close)
        } else {
            None
        }
    } else {
        None
    }
}

/// The name inside the placeholder that opens at `at` and closes at `close`.
pub open spec fn placeholder_name(template: Seq<char>, at: int, close: int) -> Seq<char> {
    template.subrange(at + 2, close)
}

/// The template from position `at` on, with the known placeholders replaced.
pub open spec fn substitute_from(
    template: Seq<char>,
    vars: Map<Seq<char>, Seq<char>>,
    at: int,
) -> Seq<char>
    decreases template.len() - at,
{
    if at < 0 || at >= template.len() {
        Seq::empty()
    } else {
        match placeholder_close(template, at) {
            Some(close) if vars.contains_key(placeholder_name(template, at, close)) => {
                vars[placeholder_name(template, at, close)] + substitute_from(
                    template,
                    vars,
                    close + 1,
                )
            },
            _ => seq![template[at]] + substitute_from(template, vars, at + 1),
        }
    }
}

/// The template with every known placeholder replaced by its value.
pub open spec fn substitute(template: Seq<char>, vars: Map<Seq<char>, Seq<char>>) -> Seq<char> {
    substitute_from(template, vars, 0)
}

/// The template from position `at` on, with every `{}` replaced by `value`.
pub open spec fn fill_from(template: Seq<char>, value: Seq<char>, at: int) -> Seq<char>
    decreases template.len() - at,
{
    if at < 0 || at >= template.len() {
        Seq::empty()
    } else if at + 1 < template.len() && template[at] == '{' && template[at + 1] == '}' {
        value + fill_from(template, value, at + 2)
    } else {
        seq![template[at]] + fill_from(template, value, at + 1)
    }
}

/// The template with every `{}` replaced by `value`, read from left to
/// right; the value is not read again.
pub open spec fn fill(template: Seq<char>, value: Seq<char>) -> Seq<char> {
    fill_from(template, value, 0)
}

/// `s` without `prefix` where it begins with it, else `s`.
pub open spec fn strip_prefix(s: Seq<char>, prefix: Seq<char>) -> Seq<char> {
    if starts_with(s, prefix) {
        s.subrange(prefix.len() as int, s.len() as int)
    } else {
        s
    }
}

/// The URL without a leading `https://`, or else without a leading
/// `http://`. Only one prefix is removed, and only at the start.
pub open spec fn strip_protocol(url: Seq<char>) -> Seq<char> {
    if starts_with(url, HTTPS_PREFIX@) {
        strip_prefix(url, HTTPS_PREFIX@)
    } else {
        strip_prefix(url, HTTP_PREFIX@)
    }
}

/// The variables that `get_template_vars` builds for a host and a URL.
pub open spec fn template_vars_of(host: Seq<char>, url: Seq<char>) -> Map<Seq<char>, Seq<char>> {
    Map::<Seq<char>, Seq<char>>::empty().insert(HOST_TEMPLATE_VAR@, host).insert(
        URL_TEMPLATE_VAR@,
        url,
    ).insert(URL_WITHOUT_PROTOCOL_TEMPLATE_VAR@, strip_protocol(url))
}

/// A template in which no placeholder names a known variable comes out
/// unchanged.
pub proof fn lemma_unknown_placeholders_stay(template: Seq<char>, vars: Map<Seq<char>, Seq<char>>)
    requires
        forall|at: int|
            (#[trigger] placeholder_close(template, at)) matches Some(close)
                ==> !vars.contains_key(placeholder_name(template, at, close)),
    ensures
        substitute(template, vars) == template,
{
    lemma_unknown_from(template, vars, 0);
    assert(template.subrange(0, template.len() as int) =~= template);
}

proof fn lemma_unknown_from(template: Seq<char>, vars: Map<Seq<char>, Seq<char>>, at: int)
    requires
        0 <= at <= template.len(),
        forall|k: int|
            (#[trigger] placeholder_close(template, k)) matches Some(close) ==> !vars.contains_key(
                placeholder_name(template, k, close),
            ),
    ensures
        substitute_from(template, vars, at) == template.subrange(at, template.len() as int),
    decreases template.len() - at,
{
    if at < template.len() {
        lemma_unknown_from(template, vars, at + 1);
        let close = placeholder_close(template, at);
        assert(substitute_from(template, vars, at) == seq![template[at]] + substitute_from(
            template,
            vars,
            at + 1,
        ));
        assert(seq![template[at]] + template.subrange(at + 1, template.len() as int)
            =~= template.subrange(at, template.len() as int));
    } else {
        assert(template.subrange(at, template.len() as int) =~= Seq::<char>::empty());
    }
}

/// With no variables at all, every template comes out unchanged.
pub proof fn lemma_no_vars_no_change(template: Seq<char>)
    ensures
        substitute(template, Map::<Seq<char>, Seq<char>>::empty()) == template,
{
    lemma_unknown_placeholders_stay(template, Map::<Seq<char>, Seq<char>>::empty());
}

/// A template that is one placeholder for a known variable comes out as the
/// variable's value, whatever the value holds: values are not read again.
pub proof fn lemma_value_not_read_again(name: Seq<char>, vars: Map<Seq<char>, Seq<char>>)
    requires
        vars.contains_key(name),
        forall|k: int| 0 <= k < name.len() ==> name[k] != '}',
    ensures
        substitute(seq!['$', '{'] + name + seq!['}'], vars) == vars[name],
{
    let template = seq!['$', '{'] + name + seq!['}'];
    let close = (name.len() + 2) as int;
    lemma_find_char_unique(template, '}', 2, close);
    assert(placeholder_close(template, 0) == Some(close));
    assert(placeholder_name(template, 0, close) =~= name);
    assert(substitute_from(template, vars, close + 1) =~= Seq::<char>::empty());
    assert(vars[name] + Seq::<char>::empty() =~= vars[name]);
}

/// The order in which two different variables are stored makes no
/// difference to what a template comes out as.
pub proof fn lemma_variable_order_is_irrelevant(
    template: Seq<char>,
    vars: Map<Seq<char>, Seq<char>>,
    first: (Seq<char>, Seq<char>),
    second: (Seq<char>, Seq<char>),
)
    requires
        first.0 != second.0,
    ensures
        substitute(template, vars.insert(first.0, first.1).insert(second.0, second.1))
            == substitute(template, vars.insert(second.0, second.1).insert(first.0, first.1)),
{
    assert(vars.insert(first.0, first.1).insert(second.0, second.1) =~= vars.insert(
        second.0,
        second.1,
    ).insert(first.0, first.1));
}

/// Replaces every `${NAME}` whose name is a key of `template_vars` by the
/// value stored under it, and leaves the rest of `input` as it is.
pub fn process_template_string(input: &str, template_vars: &TemplateVars) -> (result: String)
    ensures
        result@ == substitute(input@, template_vars@),
{
    let chars = to_chars(input);
    let n = chars.len();
    let mut result = String::new();
    let mut at: usize = 0;
    let mut copied: usize = 0;
    while at < n
        invariant
            copied <= at <= n,
            n == chars@.len(),
            chars@ == input@,
            result@ + input@.subrange(copied as int, at as int) + substitute_from(
                input@,
                template_vars@,
                at as int,
            ) == substitute(input@, template_vars@),
        decreases n - at,
    {
        let ghost before = result@;
        let ghost rest = substitute_from(input@, template_vars@, at as int);
        let mut replaced = false;
        if chars[at] == '$' && at + 1 < n && chars[at + 1] == '{' {
            let close = find_char_from(&chars, '}', at + 2);
            if close < n {
                let name = input.substring_char(at + 2, close);
                match template_vars.get(name) {
                    Some(value) => {
                        result.append(input.substring_char(copied, at));
                        result.append(value.as_str());
                        proof {
                            let tail = substitute_from(input@, template_vars@, close + 1);
                            assert(rest == value@ + tail);
                            assert(result@ + input@.subrange(close + 1, close + 1) + tail =~= before
                                + input@.subrange(copied as int, at as int) + rest);
                        }
                        at = close + 1;
                        copied = at;
                        replaced = true;
                    },
                    None => {},
                }
            }
        }
        if !replaced {
            proof {
                assert(rest == seq![input@[at as int]] + substitute_from(
                    input@,
                    template_vars@,
                    at + 1,
                ));
                assert(result@ + input@.subrange(copied as int, at + 1) + substitute_from(
                    input@,
                    template_vars@,
                    at + 1,
                ) =~= before + input@.subrange(copied as int, at as int) + rest);
            }
            at = at + 1;
        }
    }
    proof {
        assert(substitute_from(input@, template_vars@, n as int) =~= Seq::<char>::empty());
        assert(result@ + input@.subrange(copied as int, n as int) =~= result@ + input@.subrange(
            copied as int,
            at as int,
        ) + Seq::<char>::empty());
    }
    result.append(input.substring_char(copied, n));
    result
}

/// Replaces every `{}` in `template` by `value`.
pub fn fill_placeholders(template: &str, value: &str) -> (result: String)
    ensures
        result@ == fill(template@, value@),
{
    let chars = to_chars(template);
    let n = chars.len();
    let mut result = String::new();
    let mut at: usize = 0;
    let mut copied: usize = 0;
    while at < n
        invariant
            copied <= at <= n,
            n == chars@.len(),
            chars@ == template@,
            result@ + template@.subrange(copied as int, at as int) + fill_from(
                template@,
                value@,
                at as int,
            ) == fill(template@, value@),
        decreases n - at,
    {
        let ghost before = result@;
        let ghost rest = fill_from(template@, value@, at as int);
        if chars[at] == '{' && at + 1 < n && chars[at + 1] == '}' {
            result.append(template.substring_char(copied, at));
            result.append(value);
            proof {
                let tail = fill_from(template@, value@, at + 2);
                assert(result@ + template@.subrange(at + 2, at + 2) + tail =~= before
                    + template@.subrange(copied as int, at as int) + rest);
            }
            at = at + 2;
            copied = at;
        } else {
            proof {
                let tail = fill_from(template@, value@, at + 1);
                assert(result@ + template@.subrange(copied as int, at + 1) + tail =~= before
                    + template@.subrange(copied as int, at as int) + rest);
            }
            at = at + 1;
        }
    }
    proof {
        assert(fill_from(template@, value@, n as int) =~= Seq::<char>::empty());
        assert(result@ + template@.subrange(copied as int, n as int) =~= result@
            + template@.subrange(copied as int, at as int) + Seq::<char>::empty());
    }
    result.append(template.substring_char(copied, n));
    result
}

/// Removes `prefix` from the start of `s` where it stands there.
fn strip_prefix_exec(s: &str, chars: &Vec<char>, prefix: &str) -> (out: Option<String>)
    requires
        chars@ == s@,
    ensures
        out is Some == starts_with(s@, prefix@),
        out matches Some(rest) ==> rest@ == strip_prefix(s@, prefix@),
{
    let wanted = to_chars(prefix);
    if occurs_at_exec(chars, &wanted, 0) {
        Some(slice_to_string(s, wanted.len(), chars.len()))
    } else {
        None
    }
}

/// The URL without its protocol prefix: a leading `https://` is removed, or
/// else a leading `http://`; a URL with neither is returned as it is.
pub fn url_without_protocol(url: &str) -> (stripped: String)
    ensures
        stripped@ == strip_protocol(url@),
{
    let chars = to_chars(url);
    match strip_prefix_exec(url, &chars, HTTPS_PREFIX) {
        Some(rest) => rest,
        None => match strip_prefix_exec(url, &chars, HTTP_PREFIX) {
            Some(rest) => rest,
            None => String::from_str(url),
        },
    }
}

/// The variables for one URL source: `HOST`, `URL` and
/// `URL_WITHOUT_PROTOCOL`.
pub fn get_template_vars(host: &str, url: &str) -> (vars: TemplateVars)
    ensures
        vars@ == template_vars_of(host@, url@),
{
    let mut vars = StringMap::new();
    vars.insert(String::from_str(HOST_TEMPLATE_VAR), String::from_str(host));
    vars.insert(String::from_str(URL_TEMPLATE_VAR), String::from_str(url));
    vars.insert(String::from_str(URL_WITHOUT_PROTOCOL_TEMPLATE_VAR), url_without_protocol(url));
    vars
}

} // verus!
